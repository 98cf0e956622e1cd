//! The inverse of a matrix of integers whose determinant is 1 or -1.

use crate::algebra::cofactors::{
    lemma_adjugate_00, lemma_adjugate_01, lemma_adjugate_02, lemma_adjugate_03, lemma_adjugate_10,
    lemma_adjugate_11, lemma_adjugate_12, lemma_adjugate_13, lemma_adjugate_20, lemma_adjugate_21,
    lemma_adjugate_22, lemma_adjugate_23, lemma_adjugate_30, lemma_adjugate_31, lemma_adjugate_32,
    lemma_adjugate_33, lemma_i64_det_is_leibniz,
};
use crate::algebra::bounds::{entries_within, lemma_i64_inverse_defined, small};
use crate::base::matrix::{
    mat2_adj_mul_req, mat2_adj_mul_spec, mat2_mul_adj_req, mat2_mul_adj_spec, mat2_mul_req,
    mat2_mul_spec, Matrix,
};
use crate::base::vector::Vector;
use vstd::prelude::*;

verus! {

/// A cofactor `c` scaled by a determinant `d` of 1 or -1, or by its negation,
/// and then multiplied by an entry `t`.
proof fn lemma_scaled_term(c: int, d: int, t: int)
    requires
        d == 1 || d == -1,
    ensures
        (c * d) * t == (if d == 1 {
            c * t
        } else {
            -(c * t)
        }),
        (c * (-d)) * t == (if d == 1 {
            -(c * t)
        } else {
            c * t
        }),
{
    assert((c * 1) * t == c * t) by (nonlinear_arith);
    assert((c * (-1)) * t == -(c * t)) by (nonlinear_arith);
}

/// Row 0 of a matrix whose determinant is 1 or -1, times the inverse, is row
/// 0 of the identity.
proof fn lemma_row_0_times_inverse(m: Matrix<i64>)
    requires
        m.inverse_req(),
        m.det_spec() == 1 || m.det_spec() == -1,
        m.r0.times_matrix_req(m.inverse_spec()),
    ensures
        m.r0.times_matrix(m.inverse_spec()) == Matrix::<i64>::identity_spec().r0,
{
    let d = m.det_spec() as int;
    let inv = m.inverse_spec();
    let (x, y, z, w) = (m.cofactors_x(), m.cofactors_y(), m.cofactors_z(), m.cofactors_w());
    lemma_i64_det_is_leibniz(m);
    let signs = Vector { x: d as i64, y: (-d) as i64, z: (-d) as i64, w: d as i64 };
    assert(m.signs_over_det() == signs);
    lemma_adjugate_00(m);
    assert(inv.r0.x == x.w * (d));
    lemma_scaled_term(x.w as int, d, m.r0.x as int);
    assert(inv.r1.x == x.z * (-d));
    lemma_scaled_term(x.z as int, d, m.r0.y as int);
    assert(inv.r2.x == y.w * (d));
    lemma_scaled_term(y.w as int, d, m.r0.z as int);
    assert(inv.r3.x == y.z * (-d));
    lemma_scaled_term(y.z as int, d, m.r0.w as int);
    lemma_adjugate_01(m);
    assert(inv.r0.y == x.y * (-d));
    lemma_scaled_term(x.y as int, d, m.r0.x as int);
    assert(inv.r1.y == x.x * (d));
    lemma_scaled_term(x.x as int, d, m.r0.y as int);
    assert(inv.r2.y == y.y * (-d));
    lemma_scaled_term(y.y as int, d, m.r0.z as int);
    assert(inv.r3.y == y.x * (d));
    lemma_scaled_term(y.x as int, d, m.r0.w as int);
    lemma_adjugate_02(m);
    assert(inv.r0.z == z.w * (d));
    lemma_scaled_term(z.w as int, d, m.r0.x as int);
    assert(inv.r1.z == z.z * (-d));
    lemma_scaled_term(z.z as int, d, m.r0.y as int);
    assert(inv.r2.z == w.w * (d));
    lemma_scaled_term(w.w as int, d, m.r0.z as int);
    assert(inv.r3.z == w.z * (-d));
    lemma_scaled_term(w.z as int, d, m.r0.w as int);
    lemma_adjugate_03(m);
    assert(inv.r0.w == z.y * (-d));
    lemma_scaled_term(z.y as int, d, m.r0.x as int);
    assert(inv.r1.w == z.x * (d));
    lemma_scaled_term(z.x as int, d, m.r0.y as int);
    assert(inv.r2.w == w.y * (-d));
    lemma_scaled_term(w.y as int, d, m.r0.z as int);
    assert(inv.r3.w == w.x * (d));
    lemma_scaled_term(w.x as int, d, m.r0.w as int);
    assert(Matrix::<i64>::identity_spec().r0 == (Vector { x: 1i64, y: 0i64, z: 0i64, w: 0i64 }));
}

/// Row 1 of a matrix whose determinant is 1 or -1, times the inverse, is row
/// 1 of the identity.
proof fn lemma_row_1_times_inverse(m: Matrix<i64>)
    requires
        m.inverse_req(),
        m.det_spec() == 1 || m.det_spec() == -1,
        m.r1.times_matrix_req(m.inverse_spec()),
    ensures
        m.r1.times_matrix(m.inverse_spec()) == Matrix::<i64>::identity_spec().r1,
{
    let d = m.det_spec() as int;
    let inv = m.inverse_spec();
    let (x, y, z, w) = (m.cofactors_x(), m.cofactors_y(), m.cofactors_z(), m.cofactors_w());
    lemma_i64_det_is_leibniz(m);
    let signs = Vector { x: d as i64, y: (-d) as i64, z: (-d) as i64, w: d as i64 };
    assert(m.signs_over_det() == signs);
    lemma_adjugate_10(m);
    assert(inv.r0.x == x.w * (d));
    lemma_scaled_term(x.w as int, d, m.r1.x as int);
    assert(inv.r1.x == x.z * (-d));
    lemma_scaled_term(x.z as int, d, m.r1.y as int);
    assert(inv.r2.x == y.w * (d));
    lemma_scaled_term(y.w as int, d, m.r1.z as int);
    assert(inv.r3.x == y.z * (-d));
    lemma_scaled_term(y.z as int, d, m.r1.w as int);
    lemma_adjugate_11(m);
    assert(inv.r0.y == x.y * (-d));
    lemma_scaled_term(x.y as int, d, m.r1.x as int);
    assert(inv.r1.y == x.x * (d));
    lemma_scaled_term(x.x as int, d, m.r1.y as int);
    assert(inv.r2.y == y.y * (-d));
    lemma_scaled_term(y.y as int, d, m.r1.z as int);
    assert(inv.r3.y == y.x * (d));
    lemma_scaled_term(y.x as int, d, m.r1.w as int);
    lemma_adjugate_12(m);
    assert(inv.r0.z == z.w * (d));
    lemma_scaled_term(z.w as int, d, m.r1.x as int);
    assert(inv.r1.z == z.z * (-d));
    lemma_scaled_term(z.z as int, d, m.r1.y as int);
    assert(inv.r2.z == w.w * (d));
    lemma_scaled_term(w.w as int, d, m.r1.z as int);
    assert(inv.r3.z == w.z * (-d));
    lemma_scaled_term(w.z as int, d, m.r1.w as int);
    lemma_adjugate_13(m);
    assert(inv.r0.w == z.y * (-d));
    lemma_scaled_term(z.y as int, d, m.r1.x as int);
    assert(inv.r1.w == z.x * (d));
    lemma_scaled_term(z.x as int, d, m.r1.y as int);
    assert(inv.r2.w == w.y * (-d));
    lemma_scaled_term(w.y as int, d, m.r1.z as int);
    assert(inv.r3.w == w.x * (d));
    lemma_scaled_term(w.x as int, d, m.r1.w as int);
    assert(Matrix::<i64>::identity_spec().r1 == (Vector { x: 0i64, y: 1i64, z: 0i64, w: 0i64 }));
}

/// Row 2 of a matrix whose determinant is 1 or -1, times the inverse, is row
/// 2 of the identity.
proof fn lemma_row_2_times_inverse(m: Matrix<i64>)
    requires
        m.inverse_req(),
        m.det_spec() == 1 || m.det_spec() == -1,
        m.r2.times_matrix_req(m.inverse_spec()),
    ensures
        m.r2.times_matrix(m.inverse_spec()) == Matrix::<i64>::identity_spec().r2,
{
    let d = m.det_spec() as int;
    let inv = m.inverse_spec();
    let (x, y, z, w) = (m.cofactors_x(), m.cofactors_y(), m.cofactors_z(), m.cofactors_w());
    lemma_i64_det_is_leibniz(m);
    let signs = Vector { x: d as i64, y: (-d) as i64, z: (-d) as i64, w: d as i64 };
    assert(m.signs_over_det() == signs);
    lemma_adjugate_20(m);
    assert(inv.r0.x == x.w * (d));
    lemma_scaled_term(x.w as int, d, m.r2.x as int);
    assert(inv.r1.x == x.z * (-d));
    lemma_scaled_term(x.z as int, d, m.r2.y as int);
    assert(inv.r2.x == y.w * (d));
    lemma_scaled_term(y.w as int, d, m.r2.z as int);
    assert(inv.r3.x == y.z * (-d));
    lemma_scaled_term(y.z as int, d, m.r2.w as int);
    lemma_adjugate_21(m);
    assert(inv.r0.y == x.y * (-d));
    lemma_scaled_term(x.y as int, d, m.r2.x as int);
    assert(inv.r1.y == x.x * (d));
    lemma_scaled_term(x.x as int, d, m.r2.y as int);
    assert(inv.r2.y == y.y * (-d));
    lemma_scaled_term(y.y as int, d, m.r2.z as int);
    assert(inv.r3.y == y.x * (d));
    lemma_scaled_term(y.x as int, d, m.r2.w as int);
    lemma_adjugate_22(m);
    assert(inv.r0.z == z.w * (d));
    lemma_scaled_term(z.w as int, d, m.r2.x as int);
    assert(inv.r1.z == z.z * (-d));
    lemma_scaled_term(z.z as int, d, m.r2.y as int);
    assert(inv.r2.z == w.w * (d));
    lemma_scaled_term(w.w as int, d, m.r2.z as int);
    assert(inv.r3.z == w.z * (-d));
    lemma_scaled_term(w.z as int, d, m.r2.w as int);
    lemma_adjugate_23(m);
    assert(inv.r0.w == z.y * (-d));
    lemma_scaled_term(z.y as int, d, m.r2.x as int);
    assert(inv.r1.w == z.x * (d));
    lemma_scaled_term(z.x as int, d, m.r2.y as int);
    assert(inv.r2.w == w.y * (-d));
    lemma_scaled_term(w.y as int, d, m.r2.z as int);
    assert(inv.r3.w == w.x * (d));
    lemma_scaled_term(w.x as int, d, m.r2.w as int);
    assert(Matrix::<i64>::identity_spec().r2 == (Vector { x: 0i64, y: 0i64, z: 1i64, w: 0i64 }));
}

/// Row 3 of a matrix whose determinant is 1 or -1, times the inverse, is row
/// 3 of the identity.
proof fn lemma_row_3_times_inverse(m: Matrix<i64>)
    requires
        m.inverse_req(),
        m.det_spec() == 1 || m.det_spec() == -1,
        m.r3.times_matrix_req(m.inverse_spec()),
    ensures
        m.r3.times_matrix(m.inverse_spec()) == Matrix::<i64>::identity_spec().r3,
{
    let d = m.det_spec() as int;
    let inv = m.inverse_spec();
    let (x, y, z, w) = (m.cofactors_x(), m.cofactors_y(), m.cofactors_z(), m.cofactors_w());
    lemma_i64_det_is_leibniz(m);
    let signs = Vector { x: d as i64, y: (-d) as i64, z: (-d) as i64, w: d as i64 };
    assert(m.signs_over_det() == signs);
    lemma_adjugate_30(m);
    assert(inv.r0.x == x.w * (d));
    lemma_scaled_term(x.w as int, d, m.r3.x as int);
    assert(inv.r1.x == x.z * (-d));
    lemma_scaled_term(x.z as int, d, m.r3.y as int);
    assert(inv.r2.x == y.w * (d));
    lemma_scaled_term(y.w as int, d, m.r3.z as int);
    assert(inv.r3.x == y.z * (-d));
    lemma_scaled_term(y.z as int, d, m.r3.w as int);
    lemma_adjugate_31(m);
    assert(inv.r0.y == x.y * (-d));
    lemma_scaled_term(x.y as int, d, m.r3.x as int);
    assert(inv.r1.y == x.x * (d));
    lemma_scaled_term(x.x as int, d, m.r3.y as int);
    assert(inv.r2.y == y.y * (-d));
    lemma_scaled_term(y.y as int, d, m.r3.z as int);
    assert(inv.r3.y == y.x * (d));
    lemma_scaled_term(y.x as int, d, m.r3.w as int);
    lemma_adjugate_32(m);
    assert(inv.r0.z == z.w * (d));
    lemma_scaled_term(z.w as int, d, m.r3.x as int);
    assert(inv.r1.z == z.z * (-d));
    lemma_scaled_term(z.z as int, d, m.r3.y as int);
    assert(inv.r2.z == w.w * (d));
    lemma_scaled_term(w.w as int, d, m.r3.z as int);
    assert(inv.r3.z == w.z * (-d));
    lemma_scaled_term(w.z as int, d, m.r3.w as int);
    lemma_adjugate_33(m);
    assert(inv.r0.w == z.y * (-d));
    lemma_scaled_term(z.y as int, d, m.r3.x as int);
    assert(inv.r1.w == z.x * (d));
    lemma_scaled_term(z.x as int, d, m.r3.y as int);
    assert(inv.r2.w == w.y * (-d));
    lemma_scaled_term(w.y as int, d, m.r3.z as int);
    assert(inv.r3.w == w.x * (d));
    lemma_scaled_term(w.x as int, d, m.r3.w as int);
    assert(Matrix::<i64>::identity_spec().r3 == (Vector { x: 0i64, y: 0i64, z: 0i64, w: 1i64 }));
}

/// On `i64`, the identity matrix has the determinant one and is its own
/// inverse.
pub proof fn lemma_i64_identity_inverse()
    ensures
        Matrix::<i64>::identity_spec().inverse_req(),
        Matrix::<i64>::identity_spec().det_spec() == 1,
        Matrix::<i64>::identity_spec().inverse_spec() == Matrix::<i64>::identity_spec(),
{
    let m = Matrix::<i64>::identity_spec();
    assert(m.r0 == (Vector { x: 1i64, y: 0i64, z: 0i64, w: 0i64 }));
    assert(m.r1 == (Vector { x: 0i64, y: 1i64, z: 0i64, w: 0i64 }));
    assert(m.r2 == (Vector { x: 0i64, y: 0i64, z: 1i64, w: 0i64 }));
    assert(m.r3 == (Vector { x: 0i64, y: 0i64, z: 0i64, w: 1i64 }));
    let e = Vector { x: 1i64, y: 0i64, z: 0i64, w: 1i64 };
    let o = Vector { x: 0i64, y: 0i64, z: 0i64, w: 0i64 };
    assert(m.block_a() == e && m.block_d() == e && m.block_b() == o && m.block_c() == o);
    assert(m.block_dets_req());
    assert(m.block_dets() == e);
    assert(mat2_adj_mul_req(e, o));
    assert(mat2_adj_mul_spec(e, o) == o);
    assert(m.adj_a_b() == o && m.adj_d_c() == o);
    assert(m.block_trace() == 0);
    assert(m.det_lanes() == (Vector { x: 1i64, y: 1i64, z: 1i64, w: 1i64 }));
    assert(m.det_req());
    assert(mat2_mul_req(o, o) && mat2_mul_spec(o, o) == o);
    assert(mat2_mul_adj_req(e, o) && mat2_mul_adj_spec(e, o) == o);
    assert(m.cofactors_x() == e && m.cofactors_w() == e);
    assert(m.cofactors_y() == o && m.cofactors_z() == o);
    assert(m.cofactors_req());
    assert(m.signs_over_det() == (Vector { x: 1i64, y: -1i64, z: -1i64, w: 1i64 }));
}


/// On `i64`, a matrix whose determinant is 1 or -1, times its inverse, is the
/// identity matrix, wherever no step of the inverse or of the product
/// overflows. These are the matrices of integers that have an inverse of
/// integers.
pub proof fn lemma_i64_inverse_of_unimodular(m: Matrix<i64>)
    requires
        m.inverse_req(),
        m.det_spec() == 1 || m.det_spec() == -1,
        m.product_req(m.inverse_spec()),
    ensures
        m.product(m.inverse_spec()) == Matrix::<i64>::identity_spec(),
{
    lemma_row_0_times_inverse(m);
    lemma_row_1_times_inverse(m);
    lemma_row_2_times_inverse(m);
    lemma_row_3_times_inverse(m);
}

/// On `i64`, a matrix with small entries whose determinant is 1 or -1 has an
/// inverse that is free of overflow, and the matrix times that inverse is
/// the identity matrix.
pub proof fn lemma_i64_small_unimodular(m: Matrix<i64>)
    requires
        entries_within(m, small()),
        m.det_spec() == 1 || m.det_spec() == -1,
    ensures
        m.inverse_req(),
        m.product_req(m.inverse_spec()),
        m.product(m.inverse_spec()) == Matrix::<i64>::identity_spec(),
{
    lemma_i64_inverse_defined(m);
    lemma_i64_inverse_of_unimodular(m);
}

} // verus!
