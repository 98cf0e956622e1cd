//! Where the arithmetic of `i64` lanes cannot overflow.
//!
//! The contracts of this crate ask that each step of a formula be defined.
//! For lanes of `i64` that is freedom from overflow, and it follows from a
//! bound on the operands: what is shown here is how far the lanes of a vector
//! or the entries of a matrix may reach for each formula to be defined.

use crate::base::matrix::{
    mat2_adj_mul_req, mat2_adj_mul_spec, mat2_mul_adj_req, mat2_mul_adj_spec, mat2_mul_req,
    mat2_mul_spec, Matrix,
};
use crate::base::vector::Vector;
use vstd::prelude::*;
use vstd::std_specs::ops::DivSpec;

verus! {

/// The greatest absolute value of an entry for which the determinant and the
/// inverse of a matrix of `i64` are free of overflow: 2 to the power 14.
pub open spec fn small() -> int {
    16384
}

/// The lane `x` lies between `-b` and `b`.
pub open spec fn lane_within(x: i64, b: int) -> bool {
    -b <= x <= b
}

/// Every lane of `v` lies between `-b` and `b`.
pub open spec fn within(v: Vector<i64>, b: int) -> bool {
    &&& lane_within(v.x, b)
    &&& lane_within(v.y, b)
    &&& lane_within(v.z, b)
    &&& lane_within(v.w, b)
}

/// Every entry of `m` lies between `-b` and `b`.
pub open spec fn entries_within(m: Matrix<i64>, b: int) -> bool {
    &&& within(m.r0, b)
    &&& within(m.r1, b)
    &&& within(m.r2, b)
    &&& within(m.r3, b)
}

/// The product of two bounded integers is bounded by the product of the
/// bounds.
pub proof fn lemma_bounded_product(x: int, y: int, a: int, b: int)
    requires
        -a <= x <= a,
        -b <= y <= b,
    ensures
        -(a * b) <= x * y <= a * b,
{
    assert(-(a * b) <= x * y <= a * b) by (nonlinear_arith)
        requires
            -a <= x <= a,
            -b <= y <= b,
    ;
}

/// The lane-wise product of two bounded vectors is defined, and bounded by
/// the product of the bounds.
pub proof fn lemma_product_within(u: Vector<i64>, v: Vector<i64>, a: int, b: int)
    requires
        within(u, a),
        within(v, b),
        a * b <= i64::MAX,
    ensures
        u.product_req(v),
        within(u.product(v), a * b),
{
    lemma_bounded_product(u.x as int, v.x as int, a, b);
    lemma_bounded_product(u.y as int, v.y as int, a, b);
    lemma_bounded_product(u.z as int, v.z as int, a, b);
    lemma_bounded_product(u.w as int, v.w as int, a, b);
}

/// The lane-wise sum of two bounded vectors is defined, and bounded by the
/// sum of the bounds.
pub proof fn lemma_sum_within(u: Vector<i64>, v: Vector<i64>, a: int, b: int)
    requires
        within(u, a),
        within(v, b),
        a + b <= i64::MAX,
    ensures
        u.sum_req(v),
        within(u.sum(v), a + b),
{
}

/// The lane-wise difference of two bounded vectors is defined, and bounded
/// by the sum of the bounds.
pub proof fn lemma_difference_within(u: Vector<i64>, v: Vector<i64>, a: int, b: int)
    requires
        within(u, a),
        within(v, b),
        a + b <= i64::MAX,
    ensures
        u.difference_req(v),
        within(u.difference(v), a + b),
{
}

/// The sum of the lanes of a bounded vector is defined, and bounded by four
/// times the bound.
pub proof fn lemma_hsum_within(v: Vector<i64>, b: int)
    requires
        within(v, b),
        4 * b <= i64::MAX,
    ensures
        v.hsum_req(),
        lane_within(v.hsum_spec(), 4 * b),
{
}

/// The dot product of two bounded vectors is defined, and bounded by four
/// times the product of the bounds.
pub proof fn lemma_dot_within(u: Vector<i64>, v: Vector<i64>, a: int, b: int)
    requires
        within(u, a),
        within(v, b),
        4 * (a * b) <= i64::MAX,
    ensures
        Vector::dot_req(u, v),
        lane_within(Vector::dot_spec(u, v), 4 * (a * b)),
{
    lemma_product_within(u, v, a, b);
    lemma_hsum_within(u.product(v), a * b);
}

/// A row vector times a matrix, both bounded, is defined, and bounded by
/// four times the product of the bounds.
pub proof fn lemma_times_matrix_within(v: Vector<i64>, m: Matrix<i64>, a: int, b: int)
    requires
        within(v, a),
        entries_within(m, b),
        4 * (b * a) <= i64::MAX,
    ensures
        v.times_matrix_req(m),
        within(v.times_matrix(m), 4 * (b * a)),
{
    lemma_dot_within(m.column(0), v, b, a);
    lemma_dot_within(m.column(1), v, b, a);
    lemma_dot_within(m.column(2), v, b, a);
    lemma_dot_within(m.column(3), v, b, a);
}

/// The product of two bounded matrices is defined, and bounded by four
/// times the product of the bounds.
pub proof fn lemma_matrix_product_within(m: Matrix<i64>, n: Matrix<i64>, a: int, b: int)
    requires
        entries_within(m, a),
        entries_within(n, b),
        4 * (b * a) <= i64::MAX,
    ensures
        m.product_req(n),
        entries_within(m.product(n), 4 * (b * a)),
{
    lemma_times_matrix_within(m.r0, n, a, b);
    lemma_times_matrix_within(m.r1, n, a, b);
    lemma_times_matrix_within(m.r2, n, a, b);
    lemma_times_matrix_within(m.r3, n, a, b);
}

/// The adjugate of one 2x2 matrix times another, both bounded, is defined
/// and bounded by twice the product of the bounds.
pub proof fn lemma_mat2_adj_mul_within(u: Vector<i64>, v: Vector<i64>, a: int, b: int)
    requires
        within(u, a),
        within(v, b),
        2 * (a * b) <= i64::MAX,
        0 <= a * b,
    ensures
        mat2_adj_mul_req(u, v),
        within(mat2_adj_mul_spec(u, v), 2 * (a * b)),
{
    lemma_product_within(u.shuffled(3, 0, 3, 0), v, a, b);
    lemma_product_within(u.shuffled(2, 1, 2, 1), v.shuffled(1, 0, 3, 2), a, b);
    lemma_difference_within(
        u.shuffled(3, 0, 3, 0).product(v),
        u.shuffled(2, 1, 2, 1).product(v.shuffled(1, 0, 3, 2)),
        a * b,
        a * b,
    );
}

/// The product of two bounded 2x2 matrices is defined and bounded by twice
/// the product of the bounds.
pub proof fn lemma_mat2_mul_within(u: Vector<i64>, v: Vector<i64>, a: int, b: int)
    requires
        within(u, a),
        within(v, b),
        2 * (a * b) <= i64::MAX,
        0 <= a * b,
    ensures
        mat2_mul_req(u, v),
        within(mat2_mul_spec(u, v), 2 * (a * b)),
{
    lemma_product_within(u, v.shuffled(0, 0, 3, 3), a, b);
    lemma_product_within(u.shuffled(2, 3, 0, 1), v.shuffled(1, 1, 2, 2), a, b);
    lemma_sum_within(
        u.product(v.shuffled(0, 0, 3, 3)),
        u.shuffled(2, 3, 0, 1).product(v.shuffled(1, 1, 2, 2)),
        a * b,
        a * b,
    );
}

/// A bounded 2x2 matrix times the adjugate of another is defined and
/// bounded by twice the product of the bounds.
pub proof fn lemma_mat2_mul_adj_within(u: Vector<i64>, v: Vector<i64>, a: int, b: int)
    requires
        within(u, a),
        within(v, b),
        2 * (a * b) <= i64::MAX,
        0 <= a * b,
    ensures
        mat2_mul_adj_req(u, v),
        within(mat2_mul_adj_spec(u, v), 2 * (a * b)),
{
    lemma_product_within(u, v.shuffled(3, 3, 0, 0), a, b);
    lemma_product_within(u.shuffled(2, 3, 0, 1), v.shuffled(1, 1, 2, 2), a, b);
    lemma_difference_within(
        u.product(v.shuffled(3, 3, 0, 0)),
        u.shuffled(2, 3, 0, 1).product(v.shuffled(1, 1, 2, 2)),
        a * b,
        a * b,
    );
}

/// On `i64`, the determinant of a matrix with small entries is free of
/// overflow.
pub proof fn lemma_i64_det_defined(m: Matrix<i64>)
    requires
        entries_within(m, small()),
    ensures
        m.det_req(),
        within(m.block_dets(), 0x2000_0000),
        within(m.adj_a_b(), 0x2000_0000),
        within(m.adj_d_c(), 0x2000_0000),
        within(m.det_lanes(), 0x1800_0000_0000_0000),
{
    let b = small();
    let b2: int = 0x2000_0000;
    assert(b * b == 0x1000_0000) by (nonlinear_arith)
        requires
            b == 16384,
    ;
    assert(b2 * b2 == 0x0400_0000_0000_0000) by (nonlinear_arith)
        requires
            b2 == 0x2000_0000,
    ;
    lemma_product_within(
        Vector::merged(m.r0, m.r2, 0, 2, 0, 2),
        Vector::merged(m.r1, m.r3, 1, 3, 1, 3),
        b,
        b,
    );
    lemma_product_within(
        Vector::merged(m.r0, m.r2, 1, 3, 1, 3),
        Vector::merged(m.r1, m.r3, 0, 2, 0, 2),
        b,
        b,
    );
    let s = m.block_dets();
    assert(m.block_dets_req() && within(s, b2));
    lemma_mat2_adj_mul_within(m.block_a(), m.block_b(), b, b);
    lemma_mat2_adj_mul_within(m.block_d(), m.block_c(), b, b);
    let ab = m.adj_a_b();
    let dc = m.adj_d_c();
    lemma_product_within(ab, dc.shuffled(0, 2, 1, 3), b2, b2);
    lemma_hsum_within(ab.product(dc.shuffled(0, 2, 1, 3)), b2 * b2);
    lemma_product_within(s.shuffled(0, 0, 0, 0), s.shuffled(3, 3, 3, 3), b2, b2);
    lemma_product_within(s.shuffled(2, 2, 2, 2), s.shuffled(1, 1, 1, 1), b2, b2);
    let head = s.shuffled(0, 0, 0, 0).product(s.shuffled(3, 3, 3, 3));
    let tail = s.shuffled(2, 2, 2, 2).product(s.shuffled(1, 1, 1, 1));
    lemma_sum_within(head, tail, b2 * b2, b2 * b2);
    assert(within(Vector::splat(m.block_trace()), 4 * (b2 * b2)));
    lemma_difference_within(
        head.sum(tail),
        Vector::splat(m.block_trace()),
        2 * (b2 * b2),
        4 * (b2 * b2),
    );
}

/// On `i64`, the inverse of a matrix with small entries and a determinant
/// other than zero is free of overflow, and so is the product of the matrix
/// with it.
pub proof fn lemma_i64_inverse_defined(m: Matrix<i64>)
    requires
        entries_within(m, small()),
        m.det_spec() != 0,
    ensures
        m.inverse_req(),
        m.product_req(m.inverse_spec()),
        m.inverse_spec().product_req(m),
{
    let b = small();
    let b2: int = 0x2000_0000;
    let b3: int = 0x1800_0000_0000;
    assert(b2 * b == 0x0800_0000_0000 && b * b2 == 0x0800_0000_0000) by (nonlinear_arith)
        requires
            b == 16384,
            b2 == 0x2000_0000,
    ;
    assert(b3 * 1 == b3) by (nonlinear_arith);
    assert(b * b3 == 0x0600_0000_0000_0000 && b3 * b == 0x0600_0000_0000_0000)
        by (nonlinear_arith)
        requires
            b == 16384,
            b3 == 0x1800_0000_0000,
    ;
    lemma_i64_det_defined(m);
    let s = m.block_dets();
    let ab = m.adj_a_b();
    let dc = m.adj_d_c();

    lemma_product_within(s.shuffled(3, 3, 3, 3), m.block_a(), b2, b);
    lemma_mat2_mul_within(m.block_b(), dc, b, b2);
    lemma_difference_within(
        s.shuffled(3, 3, 3, 3).product(m.block_a()),
        mat2_mul_spec(m.block_b(), dc),
        b2 * b,
        2 * (b * b2),
    );
    lemma_product_within(s.shuffled(0, 0, 0, 0), m.block_d(), b2, b);
    lemma_mat2_mul_within(m.block_c(), ab, b, b2);
    lemma_difference_within(
        s.shuffled(0, 0, 0, 0).product(m.block_d()),
        mat2_mul_spec(m.block_c(), ab),
        b2 * b,
        2 * (b * b2),
    );
    lemma_product_within(s.shuffled(2, 2, 2, 2), m.block_c(), b2, b);
    lemma_mat2_mul_adj_within(m.block_d(), ab, b, b2);
    lemma_difference_within(
        s.shuffled(2, 2, 2, 2).product(m.block_c()),
        mat2_mul_adj_spec(m.block_d(), ab),
        b2 * b,
        2 * (b * b2),
    );
    lemma_product_within(s.shuffled(1, 1, 1, 1), m.block_b(), b2, b);
    lemma_mat2_mul_adj_within(m.block_a(), dc, b, b2);
    lemma_difference_within(
        s.shuffled(1, 1, 1, 1).product(m.block_b()),
        mat2_mul_adj_spec(m.block_a(), dc),
        b2 * b,
        2 * (b * b2),
    );
    assert(m.cofactors_req());
    assert(within(m.cofactors_x(), b3));
    assert(within(m.cofactors_y(), b3));
    assert(within(m.cofactors_z(), b3));
    assert(within(m.cofactors_w(), b3));

    let d = m.det_lanes();
    assert(d.x == m.det_spec() && d.y == d.x && d.z == d.x && d.w == d.x);
    let r = m.signs_over_det();
    assert(within(r, 1)) by {
        lemma_unit_over(d.x);
    }
    lemma_product_within(m.cofactors_x(), r, b3, 1);
    lemma_product_within(m.cofactors_y(), r, b3, 1);
    lemma_product_within(m.cofactors_z(), r, b3, 1);
    lemma_product_within(m.cofactors_w(), r, b3, 1);
    assert(m.inverse_req());
    let inv = m.inverse_spec();
    assert(entries_within(inv, b3));
    lemma_matrix_product_within(m, inv, b, b3);
    lemma_matrix_product_within(inv, m, b3, b);
}

/// One and minus one, divided by an integer other than zero, lie between
/// minus one and one.
proof fn lemma_unit_over(d: i64)
    requires
        d != 0,
    ensures
        1i64.div_req(d),
        (-1i64).div_req(d),
        -1 <= 1i64.div_spec(d) <= 1,
        -1 <= (-1i64).div_spec(d) <= 1,
{
    assert(-1 <= 1int / (d as int) <= 1) by (nonlinear_arith)
        requires
            d != 0,
    ;
}

} // verus!
