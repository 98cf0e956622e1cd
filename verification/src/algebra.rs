//! What the operations have in common with the algebra they are named
//! after.
//!
//! A lane type may round, so no contract of this crate assumes a law of
//! arithmetic. The statements here lift a law from the lanes to vectors and
//! matrices: each names what it needs of the lanes in its `requires`, and the
//! statements on `i64` show that 64-bit integers meet those needs wherever
//! nothing overflows.

pub mod bounds;
pub mod cofactors;
pub mod unimodular;

use crate::algebra::bounds::{entries_within, lemma_i64_det_defined, small};
use crate::algebra::cofactors::lemma_product_of_differences;
use crate::base::matrix::Matrix;
use crate::base::vector::Vector;
use crate::direction::Direction;
use crate::point::Point;
use crate::lane::{exact, exact_ordered, lit, Lane};
use crate::transform::Transform;
use vstd::prelude::*;
use vstd::std_specs::cmp::{PartialEqSpec, PartialOrdSpec};
use vstd::std_specs::convert::FromSpec;
use vstd::std_specs::ops::{AddSpec, DivSpec, MulSpec, NegSpec, SubSpec};

verus! {

/// A lane added to itself is the lane times two.
pub open spec fn doubling<T: Lane>() -> bool {
    forall|a: T| #[trigger] a.add_spec(a) == a.mul_spec(lit::<T>(2))
}

/// A lane subtracted from itself is zero.
pub open spec fn cancelling<T: Lane>() -> bool {
    forall|a: T| #[trigger] a.sub_spec(a) == lit::<T>(0)
}

/// The product of two lanes does not depend on their order.
pub open spec fn commuting<T: Lane>() -> bool {
    forall|a: T, b: T| #[trigger] a.mul_spec(b) == b.mul_spec(a)
}

/// The negation of a difference of two lanes is the difference the other
/// way round.
pub open spec fn antisymmetric<T: Lane>() -> bool {
    forall|a: T, b: T| (#[trigger] a.sub_spec(b)).neg_spec() == b.sub_spec(a)
}

/// The arithmetic of `i64`, and its order, are exact.
pub proof fn lemma_i64_is_exact()
    ensures
        exact::<i64>(),
        exact_ordered::<i64>(),
{
}

/// On `i64`, the comparison of two vectors, and that of two matrices, is
/// equality.
pub proof fn lemma_i64_comparison_is_equality(
    u: Vector<i64>,
    v: Vector<i64>,
    m: Matrix<i64>,
    n: Matrix<i64>,
)
    ensures
        u.same_lanes(v) <==> u == v,
        m.same_entries(n) <==> m == n,
{
}

/// Adding a vector to itself doubles it, where adding a lane to itself
/// doubles the lane.
pub proof fn lemma_sum_with_itself<T: Lane>(v: Vector<T>)
    requires
        doubling::<T>(),
    ensures
        v.sum(v) == v.scaled(lit::<T>(2)),
{
}

/// Subtracting a vector from itself leaves the zero vector, where
/// subtracting a lane from itself leaves zero.
pub proof fn lemma_difference_with_itself<T: Lane>(v: Vector<T>)
    requires
        cancelling::<T>(),
    ensures
        v.difference(v) == Vector::<T>::zero(),
{
}

/// The dot product does not depend on the order of its operands, where the
/// product of two lanes does not.
pub proof fn lemma_dot_commutes<T: Lane>(a: Vector<T>, b: Vector<T>)
    requires
        commuting::<T>(),
    ensures
        Vector::dot_spec(a, b) == Vector::dot_spec(b, a),
{
    assert(a.product(b) == b.product(a));
}

/// Exchanging the operands of the cross product negates it, where the
/// product of two lanes commutes and the negation of a difference is the
/// opposite difference.
pub proof fn lemma_cross_anticommutes<T: Lane>(a: Vector<T>, b: Vector<T>)
    requires
        commuting::<T>(),
        antisymmetric::<T>(),
    ensures
        Vector::cross_spec(a, b) == Vector::cross_spec(b, a).negated(),
{
    assert(b.y.mul_spec(a.z).sub_spec(b.z.mul_spec(a.y)).neg_spec() == b.z.mul_spec(a.y).sub_spec(
        b.y.mul_spec(a.z),
    ));
    assert(b.z.mul_spec(a.x).sub_spec(b.x.mul_spec(a.z)).neg_spec() == b.x.mul_spec(a.z).sub_spec(
        b.z.mul_spec(a.x),
    ));
    assert(b.x.mul_spec(a.y).sub_spec(b.y.mul_spec(a.x)).neg_spec() == b.y.mul_spec(a.x).sub_spec(
        b.x.mul_spec(a.y),
    ));
    assert(b.w.mul_spec(a.w).sub_spec(b.w.mul_spec(a.w)).neg_spec() == b.w.mul_spec(a.w).sub_spec(
        b.w.mul_spec(a.w),
    ));
}

/// On `i64`, a lane added to itself is the lane times two, and a lane
/// subtracted from itself is zero, overflow or not; the product of two lanes
/// commutes.
pub proof fn lemma_i64_lane_laws()
    ensures
        doubling::<i64>(),
        cancelling::<i64>(),
        commuting::<i64>(),
{
    assert forall|a: i64| #[trigger] a.add_spec(a) == a.mul_spec(lit::<i64>(2)) by {
        assert(a + a == a * 2);
    }
    assert forall|a: i64, b: i64| #[trigger] a.mul_spec(b) == b.mul_spec(a) by {
        assert(a * b == b * a) by (nonlinear_arith);
    }
}

/// On `i64`, adding a vector to itself doubles it, and subtracting it from
/// itself leaves the zero vector.
pub proof fn lemma_i64_sum_and_difference_with_itself(v: Vector<i64>)
    ensures
        v.sum(v) == v.scaled(2),
        v.difference(v) == Vector::<i64>::zero(),
{
    lemma_i64_lane_laws();
    lemma_sum_with_itself(v);
    lemma_difference_with_itself(v);
}

/// On `i64`, the dot product does not depend on the order of its operands.
pub proof fn lemma_i64_dot_commutes(a: Vector<i64>, b: Vector<i64>)
    ensures
        Vector::dot_spec(a, b) == Vector::dot_spec(b, a),
{
    lemma_i64_lane_laws();
    lemma_dot_commutes(a, b);
}

/// On `i64`, exchanging the operands of the cross product negates it,
/// wherever both cross products and the negation are free of overflow.
pub proof fn lemma_i64_cross_anticommutes(a: Vector<i64>, b: Vector<i64>)
    requires
        Vector::cross_req(a, b),
        Vector::cross_req(b, a),
        Vector::cross_spec(b, a).negated_req(),
    ensures
        Vector::cross_spec(a, b) == Vector::cross_spec(b, a).negated(),
{
    assert(a.y * b.z == b.z * a.y && a.z * b.y == b.y * a.z) by (nonlinear_arith);
    assert(a.z * b.x == b.x * a.z && a.x * b.z == b.z * a.x) by (nonlinear_arith);
    assert(a.x * b.y == b.y * a.x && a.y * b.x == b.x * a.y) by (nonlinear_arith);
}

/// On `i64`, the identity matrix is neutral for the matrix product, on
/// either side.
pub proof fn lemma_i64_identity_is_neutral(m: Matrix<i64>)
    ensures
        m.product_req(Matrix::identity_spec()),
        Matrix::<i64>::identity_spec().product_req(m),
        m.product(Matrix::identity_spec()) == m,
        Matrix::<i64>::identity_spec().product(m) == m,
{
    let i = Matrix::<i64>::identity_spec();
    assert(i.r0 == (Vector { x: 1i64, y: 0i64, z: 0i64, w: 0i64 }));
    assert(i.r1 == (Vector { x: 0i64, y: 1i64, z: 0i64, w: 0i64 }));
    assert(i.r2 == (Vector { x: 0i64, y: 0i64, z: 1i64, w: 0i64 }));
    assert(i.r3 == (Vector { x: 0i64, y: 0i64, z: 0i64, w: 1i64 }));
    lemma_i64_row_times_identity(m.r0);
    lemma_i64_row_times_identity(m.r1);
    lemma_i64_row_times_identity(m.r2);
    lemma_i64_row_times_identity(m.r3);
}

/// On `i64`, a row vector times the identity matrix is the row vector.
pub proof fn lemma_i64_row_times_identity(v: Vector<i64>)
    ensures
        v.times_matrix_req(Matrix::identity_spec()),
        v.times_matrix(Matrix::identity_spec()) == v,
{
    let i = Matrix::<i64>::identity_spec();
    assert(i.r0 == (Vector { x: 1i64, y: 0i64, z: 0i64, w: 0i64 }));
    assert(i.r1 == (Vector { x: 0i64, y: 1i64, z: 0i64, w: 0i64 }));
    assert(i.r2 == (Vector { x: 0i64, y: 0i64, z: 1i64, w: 0i64 }));
    assert(i.r3 == (Vector { x: 0i64, y: 0i64, z: 0i64, w: 1i64 }));
}

/// On `i64`, the two matrices of a translation are inverse to each other,
/// for a direction, that is a vector whose lane 3 is zero, with no
/// coordinate that is the least `i64`.
pub proof fn lemma_i64_translation_is_consistent(dir: Direction<i64>)
    requires
        dir.0.w == 0,
        dir.0.x > i64::MIN,
        dir.0.y > i64::MIN,
        dir.0.z > i64::MIN,
    ensures
        Transform::translate_req(dir),
        Transform::translate_spec(dir).matrix.product_req(Transform::translate_spec(dir).inverse),
        Transform::translate_spec(dir).matrix.product(Transform::translate_spec(dir).inverse)
            == Matrix::<i64>::identity_spec(),
{
    let t = Transform::translate_spec(dir);
    let i = Matrix::<i64>::identity_spec();
    assert(i.r0 == (Vector { x: 1i64, y: 0i64, z: 0i64, w: 0i64 }));
    assert(i.r1 == (Vector { x: 0i64, y: 1i64, z: 0i64, w: 0i64 }));
    assert(i.r2 == (Vector { x: 0i64, y: 0i64, z: 1i64, w: 0i64 }));
    assert(i.r3 == (Vector { x: 0i64, y: 0i64, z: 0i64, w: 1i64 }));
    assert(t.matrix.r3 == (Vector { x: dir.0.x, y: dir.0.y, z: dir.0.z, w: 1i64 }));
    assert(t.inverse.r3 == (Vector {
        x: (-dir.0.x) as i64,
        y: (-dir.0.y) as i64,
        z: (-dir.0.z) as i64,
        w: 1i64,
    }));
    assert(t.matrix.r0.times_matrix(t.inverse) == i.r0);
    assert(t.matrix.r1.times_matrix(t.inverse) == i.r1);
    assert(t.matrix.r2.times_matrix(t.inverse) == i.r2);
    assert(t.matrix.r3.times_matrix(t.inverse) == i.r3);
}

/// The determinant of the 3x3 matrix with the rows (a, b, c), (d, e, f) and
/// (g, h, i), by cofactors of its first row.
pub open spec fn det3(
    a: int,
    b: int,
    c: int,
    d: int,
    e: int,
    f: int,
    g: int,
    h: int,
    i: int,
) -> int {
    a * (e * i - f * h) - b * (d * i - f * g) + c * (d * h - e * g)
}

/// The determinant of a matrix of integers, by cofactors of its first row.
pub open spec fn cofactor_expansion(m: Matrix<i64>) -> int {
    let (r1, r2, r3) = (m.r1, m.r2, m.r3);
    m.r0.x * det3(
        r1.y as int,
        r1.z as int,
        r1.w as int,
        r2.y as int,
        r2.z as int,
        r2.w as int,
        r3.y as int,
        r3.z as int,
        r3.w as int,
    ) - m.r0.y * det3(
        r1.x as int,
        r1.z as int,
        r1.w as int,
        r2.x as int,
        r2.z as int,
        r2.w as int,
        r3.x as int,
        r3.z as int,
        r3.w as int,
    ) + m.r0.z * det3(
        r1.x as int,
        r1.y as int,
        r1.w as int,
        r2.x as int,
        r2.y as int,
        r2.w as int,
        r3.x as int,
        r3.y as int,
        r3.w as int,
    ) - m.r0.w * det3(
        r1.x as int,
        r1.y as int,
        r1.z as int,
        r2.x as int,
        r2.y as int,
        r2.z as int,
        r3.x as int,
        r3.y as int,
        r3.z as int,
    )
}

/// A product of one entry from each of four rows, however its factors are
/// paired, is the product of the first two times the product of the last two.
proof fn lemma_pairings(a: int, b: int, c: int, d: int)
    ensures
        (b * c) * (d * a) == (a * b) * (c * d),
        (a * c) * (d * b) == (a * b) * (c * d),
        (b * d) * (c * a) == (a * b) * (c * d),
        (a * d) * (c * b) == (a * b) * (c * d),
{
    assert((b * c) * (d * a) == (a * b) * (c * d)) by (nonlinear_arith);
    assert((a * c) * (d * b) == (a * b) * (c * d)) by (nonlinear_arith);
    assert((b * d) * (c * a) == (a * b) * (c * d)) by (nonlinear_arith);
    assert((a * d) * (c * b) == (a * b) * (c * d)) by (nonlinear_arith);
}

/// One term of a cofactor, multiplied out over the products of the entries of
/// the last two rows.
proof fn lemma_cofactor_term(a: int, b: int, x: int, y: int)
    ensures
        a * (b * (x - y)) == (a * b) * x - (a * b) * y,
{
    assert(a * (b * (x - y)) == (a * b) * x - (a * b) * y) by (nonlinear_arith);
}

/// A product distributes over the three terms of a cofactor.
proof fn lemma_three_terms(a: int, x: int, y: int, z: int)
    ensures
        a * (x - y + z) == a * x - a * y + a * z,
{
    assert(a * (x - y + z) == a * x - a * y + a * z) by (nonlinear_arith);
}

/// On `i64`, the determinant by 2x2 blocks is the determinant by cofactors,
/// wherever no step of the former overflows.
pub proof fn lemma_i64_det_is_cofactor_expansion(m: Matrix<i64>)
    requires
        m.det_req(),
    ensures
        m.det_spec() == cofactor_expansion(m),
{
    let (a0, a1, a2, a3) = (m.r0.x as int, m.r0.y as int, m.r0.z as int, m.r0.w as int);
    let (b0, b1, b2, b3) = (m.r1.x as int, m.r1.y as int, m.r1.z as int, m.r1.w as int);
    let (c0, c1, c2, c3) = (m.r2.x as int, m.r2.y as int, m.r2.z as int, m.r2.w as int);
    let (d0, d1, d2, d3) = (m.r3.x as int, m.r3.y as int, m.r3.z as int, m.r3.w as int);
    let s = m.block_dets();
    let ab = m.adj_a_b();
    let dc = m.adj_d_c();

    // What the block formula computes, over the integers.
    assert(s.x == a0 * b1 - a1 * b0);
    assert(s.y == a2 * b3 - a3 * b2);
    assert(s.z == c0 * d1 - c1 * d0);
    assert(s.w == c2 * d3 - c3 * d2);
    assert(ab.x == b1 * c0 - b0 * c1);
    assert(ab.y == a0 * c1 - a1 * c0);
    assert(ab.z == b1 * d0 - b0 * d1);
    assert(ab.w == a0 * d1 - a1 * d0);
    assert(dc.x == d3 * a2 - d2 * a3);
    assert(dc.y == c2 * a3 - c3 * a2);
    assert(dc.z == d3 * b2 - d2 * b3);
    assert(dc.w == c2 * b3 - c3 * b2);
    assert(m.block_trace() == ab.x * dc.x + ab.y * dc.z + ab.z * dc.y + ab.w * dc.w);
    assert(m.det_spec() == s.x * s.w + s.z * s.y - m.block_trace());

    // The six products of two differences.
    lemma_product_of_differences(a0 * b1, a1 * b0, c2 * d3, c3 * d2);
    lemma_product_of_differences(c0 * d1, c1 * d0, a2 * b3, a3 * b2);
    lemma_product_of_differences(b1 * c0, b0 * c1, d3 * a2, d2 * a3);
    lemma_product_of_differences(a0 * c1, a1 * c0, d3 * b2, d2 * b3);
    lemma_product_of_differences(b1 * d0, b0 * d1, c2 * a3, c3 * a2);
    lemma_product_of_differences(a0 * d1, a1 * d0, c2 * b3, c3 * b2);

    // Each product of four entries, one from each row, in one form.
    lemma_pairings(a2, b1, c0, d3);
    lemma_pairings(a3, b1, c0, d2);
    lemma_pairings(a2, b0, c1, d3);
    lemma_pairings(a3, b0, c1, d2);
    lemma_pairings(a0, b2, c1, d3);
    lemma_pairings(a0, b3, c1, d2);
    lemma_pairings(a1, b2, c0, d3);
    lemma_pairings(a1, b3, c0, d2);
    lemma_pairings(a3, b1, c2, d0);
    lemma_pairings(a2, b1, c3, d0);
    lemma_pairings(a3, b0, c2, d1);
    lemma_pairings(a2, b0, c3, d1);
    lemma_pairings(a0, b3, c2, d1);
    lemma_pairings(a0, b2, c3, d1);
    lemma_pairings(a1, b3, c2, d0);
    lemma_pairings(a1, b2, c3, d0);

    // The cofactors of the first row, multiplied out.
    let k0 = b1 * (c2 * d3 - c3 * d2);
    let k1 = b2 * (c1 * d3 - c3 * d1);
    let k2 = b3 * (c1 * d2 - c2 * d1);
    lemma_three_terms(a0, k0, k1, k2);
    lemma_cofactor_term(a0, b1, c2 * d3, c3 * d2);
    lemma_cofactor_term(a0, b2, c1 * d3, c3 * d1);
    lemma_cofactor_term(a0, b3, c1 * d2, c2 * d1);
    let l0 = b0 * (c2 * d3 - c3 * d2);
    let l1 = b2 * (c0 * d3 - c3 * d0);
    let l2 = b3 * (c0 * d2 - c2 * d0);
    lemma_three_terms(a1, l0, l1, l2);
    lemma_cofactor_term(a1, b0, c2 * d3, c3 * d2);
    lemma_cofactor_term(a1, b2, c0 * d3, c3 * d0);
    lemma_cofactor_term(a1, b3, c0 * d2, c2 * d0);
    let n0 = b0 * (c1 * d3 - c3 * d1);
    let n1 = b1 * (c0 * d3 - c3 * d0);
    let n2 = b3 * (c0 * d1 - c1 * d0);
    lemma_three_terms(a2, n0, n1, n2);
    lemma_cofactor_term(a2, b0, c1 * d3, c3 * d1);
    lemma_cofactor_term(a2, b1, c0 * d3, c3 * d0);
    lemma_cofactor_term(a2, b3, c0 * d1, c1 * d0);
    let o0 = b0 * (c1 * d2 - c2 * d1);
    let o1 = b1 * (c0 * d2 - c2 * d0);
    let o2 = b2 * (c0 * d1 - c1 * d0);
    lemma_three_terms(a3, o0, o1, o2);
    lemma_cofactor_term(a3, b0, c1 * d2, c2 * d1);
    lemma_cofactor_term(a3, b1, c0 * d2, c2 * d0);
    lemma_cofactor_term(a3, b2, c0 * d1, c1 * d0);
    assert(cofactor_expansion(m) == a0 * (k0 - k1 + k2) - a1 * (l0 - l1 + l2) + a2 * (n0 - n1 + n2)
        - a3 * (o0 - o1 + o2));
}

/// On `i64`, the determinant of a matrix with small entries is free of
/// overflow, and is the determinant by cofactors.
pub proof fn lemma_i64_small_det(m: Matrix<i64>)
    requires
        entries_within(m, small()),
    ensures
        m.det_req(),
        m.det_spec() == cofactor_expansion(m),
{
    lemma_i64_det_defined(m);
    lemma_i64_det_is_cofactor_expansion(m);
}

/// On `i64`, what is computed from directions is a direction: lane 3 stays
/// zero under the sum, the difference, the negation, the multiplication by a
/// scalar, the division by a scalar other than zero and the cross product.
pub proof fn lemma_i64_directions_stay_directions(a: Direction<i64>, b: Direction<i64>, s: i64)
    requires
        a.0.w == 0,
        b.0.w == 0,
    ensures
        a.sum(b).0.w == 0,
        a.difference(b).0.w == 0,
        a.negated().0.w == 0,
        a.scaled(s).0.w == 0,
        s != 0 ==> a.shrunk(s).0.w == 0,
        Vector::cross_spec(a.0, b.0).w == 0,
{
    assert(0 * s == 0) by (nonlinear_arith);
    if s != 0 {
        assert(0int / (s as int) == 0) by (nonlinear_arith)
            requires
                s != 0,
        ;
    }
}

/// On `i64`, a point moved by a direction is a point, and the offset between
/// two points is a direction: lane 3 stays one in the first case and is zero
/// in the second.
pub proof fn lemma_i64_points_and_offsets(p: Point<i64>, q: Point<i64>, d: Direction<i64>)
    requires
        p.0.w == 1,
        q.0.w == 1,
        d.0.w == 0,
    ensures
        p.moved(d).0.w == 1,
        p.moved_back(d).0.w == 1,
        p.offset_from(q).0.w == 0,
{
}

/// The last column of `m` is (0, 0, 0, 1), as in the matrix of an affine
/// transform that acts on row vectors.
pub open spec fn affine(m: Matrix<i64>) -> bool {
    m.column(3) == (Vector { x: 0i64, y: 0i64, z: 0i64, w: 1i64 })
}

/// On `i64`, an affine matrix takes a direction to a direction and a point
/// to a point: lane 3 of a row vector is left as it is.
pub proof fn lemma_i64_affine_keeps_lane_3(v: Vector<i64>, m: Matrix<i64>)
    requires
        affine(m),
    ensures
        v.times_matrix(m).w == v.w,
{
    assert(0 * v.x == 0 && 0 * v.y == 0 && 0 * v.z == 0 && 1 * v.w == v.w) by (nonlinear_arith);
}

/// On `i64`, the matrices of a translation and of the scaling by a direction
/// are affine, and the product of two affine matrices is affine wherever it
/// is free of overflow.
pub proof fn lemma_i64_affine_matrices(dir: Direction<i64>, m: Matrix<i64>, n: Matrix<i64>)
    requires
        dir.0.w == 0,
        affine(m),
        affine(n),
        m.product_req(n),
    ensures
        affine(Transform::translate_spec(dir).matrix),
        affine(Transform::scale_spec(dir).matrix),
        affine(m.product(n)),
{
    let t = Transform::translate_spec(dir);
    let i = Matrix::<i64>::identity_spec();
    assert(i.r0.w == 0 && i.r1.w == 0 && i.r2.w == 0);
    assert(t.matrix.r3.w == 1);
    lemma_i64_affine_keeps_lane_3(m.r0, n);
    lemma_i64_affine_keeps_lane_3(m.r1, n);
    lemma_i64_affine_keeps_lane_3(m.r2, n);
    lemma_i64_affine_keeps_lane_3(m.r3, n);
}

} // verus!
