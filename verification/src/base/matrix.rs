//! 4x4 matrices of four row vectors.

use crate::base::vector::Vector;
use crate::lane::{exact, lane, lit, sound, Lane};
use core::ops::{Add, Div, Mul, MulAssign, Sub};
use vstd::prelude::*;
use vstd::std_specs::cmp::PartialEqSpec;
use vstd::std_specs::ops::{AddSpec, DivSpec, MulSpec, SubSpec};

verus! {

/// A 4x4 matrix, held as its four rows.
#[derive(Clone, Copy, Debug)]
pub struct Matrix<T> {
    pub r0: Vector<T>,
    pub r1: Vector<T>,
    pub r2: Vector<T>,
    pub r3: Vector<T>,
}

impl<T: PartialEq> Matrix<T> {
    /// Each entry of `self` equals the same entry of `other`, as the lane
    /// type compares.
    pub open spec fn same_entries(self, other: Matrix<T>) -> bool {
        &&& self.r0.same_lanes(other.r0)
        &&& self.r1.same_lanes(other.r1)
        &&& self.r2.same_lanes(other.r2)
        &&& self.r3.same_lanes(other.r3)
    }
}

impl<T: PartialEq> PartialEq for Matrix<T> {
    /// Whether the two matrices are equal entry by entry.
    fn eq(&self, other: &Matrix<T>) -> (r: bool)
        ensures
            T::obeys_eq_spec() ==> r == self.same_entries(*other),
    {
        self.r0 == other.r0 && self.r1 == other.r1 && self.r2 == other.r2 && self.r3 == other.r3
    }
}

impl<T: PartialEq> vstd::std_specs::cmp::PartialEqSpecImpl for Matrix<T> {
    open spec fn obeys_eq_spec() -> bool {
        T::obeys_eq_spec()
    }

    open spec fn eq_spec(&self, other: &Matrix<T>) -> bool {
        self.same_entries(*other)
    }
}

impl<T> Matrix<T> {
    /// The row with index `i`; row 3 for every index above 2.
    pub open spec fn row(self, i: int) -> Vector<T> {
        if i == 0 {
            self.r0
        } else if i == 1 {
            self.r1
        } else if i == 2 {
            self.r2
        } else {
            self.r3
        }
    }

    /// The column with index `j`, read from row 0 down.
    pub open spec fn column(self, j: int) -> Vector<T> {
        Vector { x: self.r0.lane(j), y: self.r1.lane(j), z: self.r2.lane(j), w: self.r3.lane(j) }
    }

    /// The entry in row `i` and column `j`.
    pub open spec fn entry(self, i: int, j: int) -> T {
        self.row(i).lane(j)
    }

    /// The matrix whose rows are the columns of `self`.
    pub open spec fn transposed(self) -> Matrix<T> {
        Matrix { r0: self.column(0), r1: self.column(1), r2: self.column(2), r3: self.column(3) }
    }
}

impl<T: Copy> Matrix<T> {
    /// The matrix with the given entries, `rows[i][j]` in row `i` and
    /// column `j`.
    pub open spec fn of_rows(rows: [[T; 4]; 4]) -> Matrix<T> {
        Matrix {
            r0: Vector { x: rows[0][0], y: rows[0][1], z: rows[0][2], w: rows[0][3] },
            r1: Vector { x: rows[1][0], y: rows[1][1], z: rows[1][2], w: rows[1][3] },
            r2: Vector { x: rows[2][0], y: rows[2][1], z: rows[2][2], w: rows[2][3] },
            r3: Vector { x: rows[3][0], y: rows[3][1], z: rows[3][2], w: rows[3][3] },
        }
    }

    /// The matrix with the given entries, `rows[i][j]` in row `i` and
    /// column `j`.
    pub fn rows(rows: [[T; 4]; 4]) -> (r: Matrix<T>)
        ensures
            r == Self::of_rows(rows),
    {
        Matrix {
            r0: Vector::new(rows[0][0], rows[0][1], rows[0][2], rows[0][3]),
            r1: Vector::new(rows[1][0], rows[1][1], rows[1][2], rows[1][3]),
            r2: Vector::new(rows[2][0], rows[2][1], rows[2][2], rows[2][3]),
            r3: Vector::new(rows[3][0], rows[3][1], rows[3][2], rows[3][3]),
        }
    }

    /// The matrix with the given rows.
    pub fn row_vectors(rows: [Vector<T>; 4]) -> (r: Matrix<T>)
        ensures
            r == (Matrix { r0: rows[0], r1: rows[1], r2: rows[2], r3: rows[3] }),
    {
        Matrix { r0: rows[0], r1: rows[1], r2: rows[2], r3: rows[3] }
    }

    /// The transpose, in eight merges: the first four interleave the 2x2
    /// blocks of two rows each, the last four put the columns together.
    pub fn transpose(&self) -> (r: Matrix<T>)
        ensures
            r == self.transposed(),
    {
        let t0 = Vector::shuffle_merge::<0, 1, 0, 1>(self.r0, self.r1);
        let t1 = Vector::shuffle_merge::<2, 3, 2, 3>(self.r0, self.r1);
        let t2 = Vector::shuffle_merge::<0, 1, 0, 1>(self.r2, self.r3);
        let t3 = Vector::shuffle_merge::<2, 3, 2, 3>(self.r2, self.r3);
        Matrix {
            r0: Vector::shuffle_merge::<0, 2, 0, 2>(t0, t2),
            r1: Vector::shuffle_merge::<1, 3, 1, 3>(t0, t2),
            r2: Vector::shuffle_merge::<0, 2, 0, 2>(t1, t3),
            r3: Vector::shuffle_merge::<1, 3, 1, 3>(t1, t3),
        }
    }

    /// The row with index `idx`.
    pub fn get_row(&self, idx: u8) -> (r: Vector<T>)
        requires
            idx < 4,
        ensures
            r == self.row(idx as int),
    {
        if idx == 0 {
            self.r0
        } else if idx == 1 {
            self.r1
        } else if idx == 2 {
            self.r2
        } else {
            self.r3
        }
    }

    /// The column with index `idx`.
    pub fn get_column(&self, idx: u8) -> (r: Vector<T>)
        requires
            idx < 4,
        ensures
            r == self.column(idx as int),
    {
        Vector::new(self.r0.get(idx), self.r1.get(idx), self.r2.get(idx), self.r3.get(idx))
    }
}

/// Transposing twice gives the matrix back.
pub proof fn lemma_transpose_involution<T>(m: Matrix<T>)
    ensures
        m.transposed().transposed() == m,
{
}

/// The entry of the transpose in row `i` and column `j` is the entry of the
/// matrix in row `j` and column `i`.
pub proof fn lemma_transpose_entry<T>(m: Matrix<T>, i: int, j: int)
    requires
        0 <= i < 4,
        0 <= j < 4,
    ensures
        m.transposed().entry(i, j) == m.entry(j, i),
{
}

impl<T: Lane> Mul<Matrix<T>> for Vector<T> {
    type Output = Vector<T>;

    /// The row vector times the matrix: lane `j` of the result is the dot
    /// product of column `j` with the vector.
    /// Asks for `self.times_matrix_req(rhs)`.
    fn mul(self, rhs: Matrix<T>) -> (r: Vector<T>)
        ensures
            exact::<T>() ==> r == self.times_matrix(rhs),
    {
        Vector::new(
            Vector::dot(rhs.get_column(0), self),
            Vector::dot(rhs.get_column(1), self),
            Vector::dot(rhs.get_column(2), self),
            Vector::dot(rhs.get_column(3), self),
        )
    }
}

impl<T: Lane> Vector<T> {
    /// The row vector times the matrix `m`: lane `j` is the dot product of
    /// column `j` of `m` with the vector.
    pub open spec fn times_matrix(self, m: Matrix<T>) -> Vector<T> {
        Vector {
            x: Vector::dot_spec(m.column(0), self),
            y: Vector::dot_spec(m.column(1), self),
            z: Vector::dot_spec(m.column(2), self),
            w: Vector::dot_spec(m.column(3), self),
        }
    }

    /// The arithmetic of `T` can be chained, and each step of
    /// `times_matrix` is defined.
    pub open spec fn times_matrix_req(self, m: Matrix<T>) -> bool {
        &&& sound::<T>()
        &&& Vector::dot_req(m.column(0), self)
        &&& Vector::dot_req(m.column(1), self)
        &&& Vector::dot_req(m.column(2), self)
        &&& Vector::dot_req(m.column(3), self)
    }
}

impl<T: Lane> vstd::std_specs::ops::MulSpecImpl<Matrix<T>> for Vector<T> {
    open spec fn obeys_mul_spec() -> bool {
        exact::<T>()
    }

    open spec fn mul_req(self, rhs: Matrix<T>) -> bool {
        self.times_matrix_req(rhs)
    }

    open spec fn mul_spec(self, rhs: Matrix<T>) -> Vector<T> {
        self.times_matrix(rhs)
    }
}

impl<T: Lane> MulAssign<Matrix<T>> for Vector<T> {
    /// Replaces the vector by its product with the matrix.
    fn mul_assign(&mut self, rhs: Matrix<T>)
        requires
            old(self).times_matrix_req(rhs),
        ensures
            exact::<T>() ==> *final(self) == old(self).times_matrix(rhs),
    {
        *self = *self * rhs;
    }
}

impl<T: Lane> Mul for Matrix<T> {
    type Output = Matrix<T>;

    /// The matrix product. Each row of the left operand is spread lane by
    /// lane over the rows of the right one, and the four products are summed,
    /// so that neither operand is transposed.
    /// Asks for `self.product_req(rhs)`.
    fn mul(self, rhs: Matrix<T>) -> (r: Matrix<T>)
        ensures
            exact::<T>() ==> r == self.product(rhs),
    {
        Matrix {
            r0: spread(self.r0, rhs),
            r1: spread(self.r1, rhs),
            r2: spread(self.r2, rhs),
            r3: spread(self.r3, rhs),
        }
    }
}

impl<T: Lane> Matrix<T> {
    /// The matrix product. Row `i` is row `i` of `self` times `rhs`: the
    /// entry in row `i` and column `j` sums `rhs[k][j] * self[i][k]` over
    /// `k`, from 0 upwards.
    pub open spec fn product(self, rhs: Matrix<T>) -> Matrix<T> {
        Matrix {
            r0: self.r0.times_matrix(rhs),
            r1: self.r1.times_matrix(rhs),
            r2: self.r2.times_matrix(rhs),
            r3: self.r3.times_matrix(rhs),
        }
    }

    /// The arithmetic of `T` can be chained, and each step of `product` is
    /// defined.
    pub open spec fn product_req(self, rhs: Matrix<T>) -> bool {
        &&& self.r0.times_matrix_req(rhs)
        &&& self.r1.times_matrix_req(rhs)
        &&& self.r2.times_matrix_req(rhs)
        &&& self.r3.times_matrix_req(rhs)
    }
}

impl<T: Lane> vstd::std_specs::ops::MulSpecImpl for Matrix<T> {
    open spec fn obeys_mul_spec() -> bool {
        exact::<T>()
    }

    open spec fn mul_req(self, rhs: Matrix<T>) -> bool {
        self.product_req(rhs)
    }

    open spec fn mul_spec(self, rhs: Matrix<T>) -> Matrix<T> {
        self.product(rhs)
    }
}

impl<T: Lane> MulAssign for Matrix<T> {
    /// Replaces the matrix by its product with `rhs`.
    fn mul_assign(&mut self, rhs: Matrix<T>)
        requires
            old(self).product_req(rhs),
        ensures
            exact::<T>() ==> *final(self) == old(self).product(rhs),
    {
        *self = *self * rhs;
    }
}

/// One row of a matrix product: the rows of `m`, each times one lane of `a`,
/// summed from row 0 upwards.
fn spread<T: Lane>(a: Vector<T>, m: Matrix<T>) -> (r: Vector<T>)
    requires
        a.times_matrix_req(m),
    ensures
        exact::<T>() ==> r == a.times_matrix(m),
{
    m.r0 * a.shuffle::<0, 0, 0, 0>() + m.r1 * a.shuffle::<1, 1, 1, 1>() + m.r2 * a.shuffle::<
        2,
        2,
        2,
        2,
    >() + m.r3 * a.shuffle::<3, 3, 3, 3>()
}

impl<T: Lane> Default for Matrix<T> {
    /// The identity matrix.
    fn default() -> (r: Matrix<T>)
        ensures
            exact::<T>() ==> r == Matrix::<T>::identity_spec(),
    {
        Matrix::identity()
    }
}

impl<T: Lane> Matrix<T> {
    /// The matrix with one on the diagonal and zero elsewhere.
    pub open spec fn identity_spec() -> Matrix<T> {
        let o = lit::<T>(1);
        let z = lit::<T>(0);
        Matrix {
            r0: Vector { x: o, y: z, z: z, w: z },
            r1: Vector { x: z, y: o, z: z, w: z },
            r2: Vector { x: z, y: z, z: o, w: z },
            r3: Vector { x: z, y: z, z: z, w: o },
        }
    }

    /// The identity matrix.
    pub fn identity() -> (r: Matrix<T>)
        ensures
            exact::<T>() ==> r == Self::identity_spec(),
    {
        let o = lane::<T>(1);
        let z = lane::<T>(0);
        Matrix {
            r0: Vector::new(o, z, z, z),
            r1: Vector::new(z, o, z, z),
            r2: Vector::new(z, z, o, z),
            r3: Vector::new(z, z, z, o),
        }
    }
}

/// The product of two 2x2 matrices, each held column by column in the four
/// lanes of a vector. A block that is read row by row is, held like this, its
/// own transpose.
pub open spec fn mat2_mul_spec<T: Lane>(v1: Vector<T>, v2: Vector<T>) -> Vector<T> {
    v1.product(v2.shuffled(0, 0, 3, 3)).sum(
        v1.shuffled(2, 3, 0, 1).product(v2.shuffled(1, 1, 2, 2)),
    )
}

/// Each step of `mat2_mul_spec` is defined.
pub open spec fn mat2_mul_req<T: Lane>(v1: Vector<T>, v2: Vector<T>) -> bool {
    &&& v1.product_req(v2.shuffled(0, 0, 3, 3))
    &&& v1.shuffled(2, 3, 0, 1).product_req(v2.shuffled(1, 1, 2, 2))
    &&& v1.product(v2.shuffled(0, 0, 3, 3)).sum_req(
        v1.shuffled(2, 3, 0, 1).product(v2.shuffled(1, 1, 2, 2)),
    )
}

/// The adjugate of the 2x2 matrix `v1`, times the 2x2 matrix `v2`, each held
/// column by column.
pub open spec fn mat2_adj_mul_spec<T: Lane>(v1: Vector<T>, v2: Vector<T>) -> Vector<T> {
    v1.shuffled(3, 0, 3, 0).product(v2).difference(
        v1.shuffled(2, 1, 2, 1).product(v2.shuffled(1, 0, 3, 2)),
    )
}

/// Each step of `mat2_adj_mul_spec` is defined.
pub open spec fn mat2_adj_mul_req<T: Lane>(v1: Vector<T>, v2: Vector<T>) -> bool {
    &&& v1.shuffled(3, 0, 3, 0).product_req(v2)
    &&& v1.shuffled(2, 1, 2, 1).product_req(v2.shuffled(1, 0, 3, 2))
    &&& v1.shuffled(3, 0, 3, 0).product(v2).difference_req(
        v1.shuffled(2, 1, 2, 1).product(v2.shuffled(1, 0, 3, 2)),
    )
}

/// The 2x2 matrix `v1` times the adjugate of the 2x2 matrix `v2`, each held
/// column by column.
pub open spec fn mat2_mul_adj_spec<T: Lane>(v1: Vector<T>, v2: Vector<T>) -> Vector<T> {
    v1.product(v2.shuffled(3, 3, 0, 0)).difference(
        v1.shuffled(2, 3, 0, 1).product(v2.shuffled(1, 1, 2, 2)),
    )
}

/// Each step of `mat2_mul_adj_spec` is defined.
pub open spec fn mat2_mul_adj_req<T: Lane>(v1: Vector<T>, v2: Vector<T>) -> bool {
    &&& v1.product_req(v2.shuffled(3, 3, 0, 0))
    &&& v1.shuffled(2, 3, 0, 1).product_req(v2.shuffled(1, 1, 2, 2))
    &&& v1.product(v2.shuffled(3, 3, 0, 0)).difference_req(
        v1.shuffled(2, 3, 0, 1).product(v2.shuffled(1, 1, 2, 2)),
    )
}

/// The product of two 2x2 matrices held column by column.
fn mat2_mul<T: Lane>(v1: Vector<T>, v2: Vector<T>) -> (r: Vector<T>)
    requires
        sound::<T>(),
        mat2_mul_req(v1, v2),
    ensures
        exact::<T>() ==> r == mat2_mul_spec(v1, v2),
{
    v1 * v2.shuffle::<0, 0, 3, 3>() + v1.shuffle::<2, 3, 0, 1>() * v2.shuffle::<1, 1, 2, 2>()
}

/// The adjugate of the first 2x2 matrix times the second.
fn mat2_adj_mul<T: Lane>(v1: Vector<T>, v2: Vector<T>) -> (r: Vector<T>)
    requires
        sound::<T>(),
        mat2_adj_mul_req(v1, v2),
    ensures
        exact::<T>() ==> r == mat2_adj_mul_spec(v1, v2),
{
    v1.shuffle::<3, 0, 3, 0>() * v2 - v1.shuffle::<2, 1, 2, 1>() * v2.shuffle::<1, 0, 3, 2>()
}

/// The first 2x2 matrix times the adjugate of the second.
fn mat2_mul_adj<T: Lane>(v1: Vector<T>, v2: Vector<T>) -> (r: Vector<T>)
    requires
        sound::<T>(),
        mat2_mul_adj_req(v1, v2),
    ensures
        exact::<T>() ==> r == mat2_mul_adj_spec(v1, v2),
{
    v1 * v2.shuffle::<3, 3, 0, 0>() - v1.shuffle::<2, 3, 0, 1>() * v2.shuffle::<1, 1, 2, 2>()
}

/// What the determinant and the inverse are both computed from.
struct Minors<T> {
    a: Vector<T>,
    b: Vector<T>,
    c: Vector<T>,
    d: Vector<T>,
    dets: Vector<T>,
    a_b: Vector<T>,
    d_c: Vector<T>,
    det: Vector<T>,
}

impl<T: Lane> Matrix<T> {
    /// The upper left 2x2 block, row by row.
    pub open spec fn block_a(self) -> Vector<T> {
        Vector::merged(self.r0, self.r1, 0, 1, 0, 1)
    }

    /// The lower left 2x2 block, row by row.
    pub open spec fn block_b(self) -> Vector<T> {
        Vector::merged(self.r2, self.r3, 0, 1, 0, 1)
    }

    /// The upper right 2x2 block, row by row.
    pub open spec fn block_c(self) -> Vector<T> {
        Vector::merged(self.r0, self.r1, 2, 3, 2, 3)
    }

    /// The lower right 2x2 block, row by row.
    pub open spec fn block_d(self) -> Vector<T> {
        Vector::merged(self.r2, self.r3, 2, 3, 2, 3)
    }

    /// The determinants of the four blocks: of the upper left one in lane
    /// 0, of the upper right one in lane 1, of the lower left one in lane 2
    /// and of the lower right one in lane 3.
    pub open spec fn block_dets(self) -> Vector<T> {
        Vector::merged(self.r0, self.r2, 0, 2, 0, 2).product(
            Vector::merged(self.r1, self.r3, 1, 3, 1, 3),
        ).difference(
            Vector::merged(self.r0, self.r2, 1, 3, 1, 3).product(
                Vector::merged(self.r1, self.r3, 0, 2, 0, 2),
            ),
        )
    }

    /// Each step of `block_dets` is defined.
    pub open spec fn block_dets_req(self) -> bool {
        &&& Vector::merged(self.r0, self.r2, 0, 2, 0, 2).product_req(
            Vector::merged(self.r1, self.r3, 1, 3, 1, 3),
        )
        &&& Vector::merged(self.r0, self.r2, 1, 3, 1, 3).product_req(
            Vector::merged(self.r1, self.r3, 0, 2, 0, 2),
        )
        &&& Vector::merged(self.r0, self.r2, 0, 2, 0, 2).product(
            Vector::merged(self.r1, self.r3, 1, 3, 1, 3),
        ).difference_req(
            Vector::merged(self.r0, self.r2, 1, 3, 1, 3).product(
                Vector::merged(self.r1, self.r3, 0, 2, 0, 2),
            ),
        )
    }

    /// The adjugate of the upper left block times the lower left block.
    pub open spec fn adj_a_b(self) -> Vector<T> {
        mat2_adj_mul_spec(self.block_a(), self.block_b())
    }

    /// The adjugate of the lower right block times the upper right block.
    pub open spec fn adj_d_c(self) -> Vector<T> {
        mat2_adj_mul_spec(self.block_d(), self.block_c())
    }

    /// The trace of the product of `adj_a_b` and `adj_d_c`.
    pub open spec fn block_trace(self) -> T {
        self.adj_a_b().product(self.adj_d_c().shuffled(0, 2, 1, 3)).hsum_spec()
    }

    /// The determinant in each of four lanes: the product of the
    /// determinants of the two diagonal blocks, plus that of the two others,
    /// minus `block_trace`.
    pub open spec fn det_lanes(self) -> Vector<T> {
        let s = self.block_dets();
        s.shuffled(0, 0, 0, 0).product(s.shuffled(3, 3, 3, 3)).sum(
            s.shuffled(2, 2, 2, 2).product(s.shuffled(1, 1, 1, 1)),
        ).difference(Vector::splat(self.block_trace()))
    }

    /// The determinant, by the decomposition into 2x2 blocks.
    pub open spec fn det_spec(self) -> T {
        self.det_lanes().x
    }

    /// Each step of `det_spec` is defined.
    pub open spec fn det_req(self) -> bool {
        let s = self.block_dets();
        &&& self.block_dets_req()
        &&& mat2_adj_mul_req(self.block_a(), self.block_b())
        &&& mat2_adj_mul_req(self.block_d(), self.block_c())
        &&& self.adj_a_b().product_req(self.adj_d_c().shuffled(0, 2, 1, 3))
        &&& self.adj_a_b().product(self.adj_d_c().shuffled(0, 2, 1, 3)).hsum_req()
        &&& s.shuffled(0, 0, 0, 0).product_req(s.shuffled(3, 3, 3, 3))
        &&& s.shuffled(2, 2, 2, 2).product_req(s.shuffled(1, 1, 1, 1))
        &&& s.shuffled(0, 0, 0, 0).product(s.shuffled(3, 3, 3, 3)).sum_req(
            s.shuffled(2, 2, 2, 2).product(s.shuffled(1, 1, 1, 1)),
        )
        &&& s.shuffled(0, 0, 0, 0).product(s.shuffled(3, 3, 3, 3)).sum(
            s.shuffled(2, 2, 2, 2).product(s.shuffled(1, 1, 1, 1)),
        ).difference_req(Vector::splat(self.block_trace()))
    }

    /// The blocks, their determinants, the two adjugate products and the
    /// determinant.
    fn minors(&self) -> (r: Minors<T>)
        requires
            sound::<T>(),
            self.det_req(),
        ensures
            r.a == self.block_a(),
            r.b == self.block_b(),
            r.c == self.block_c(),
            r.d == self.block_d(),
            exact::<T>() ==> r.dets == self.block_dets(),
            exact::<T>() ==> r.a_b == self.adj_a_b(),
            exact::<T>() ==> r.d_c == self.adj_d_c(),
            exact::<T>() ==> r.det == self.det_lanes(),
    {
        let a = Vector::shuffle_merge::<0, 1, 0, 1>(self.r0, self.r1);
        let c = Vector::shuffle_merge::<2, 3, 2, 3>(self.r0, self.r1);
        let b = Vector::shuffle_merge::<0, 1, 0, 1>(self.r2, self.r3);
        let d = Vector::shuffle_merge::<2, 3, 2, 3>(self.r2, self.r3);

        let dets = Vector::shuffle_merge::<0, 2, 0, 2>(self.r0, self.r2) * Vector::shuffle_merge::<
            1,
            3,
            1,
            3,
        >(self.r1, self.r3) - Vector::shuffle_merge::<1, 3, 1, 3>(self.r0, self.r2)
            * Vector::shuffle_merge::<0, 2, 0, 2>(self.r1, self.r3);
        let det_a = dets.shuffle::<0, 0, 0, 0>();
        let det_c = dets.shuffle::<1, 1, 1, 1>();
        let det_b = dets.shuffle::<2, 2, 2, 2>();
        let det_d = dets.shuffle::<3, 3, 3, 3>();

        let d_c = mat2_adj_mul(d, c);
        let a_b = mat2_adj_mul(a, b);

        let tr = (a_b * d_c.shuffle::<0, 2, 1, 3>()).hsum();
        let det = (det_a * det_d + det_b * det_c) - Vector::new(tr, tr, tr, tr);
        Minors { a, b, c, d, dets, a_b, d_c, det }
    }

    /// The determinant, in closed form: the matrix is cut into four 2x2
    /// blocks, and their determinants and adjugate products are combined.
    pub fn det(&self) -> (r: T)
        requires
            sound::<T>(),
            self.det_req(),
        ensures
            exact::<T>() ==> r == self.det_spec(),
    {
        self.minors().det.x()
    }

    /// The upper left block of the adjugate, before its signs are set.
    pub open spec fn cofactors_x(self) -> Vector<T> {
        self.block_dets().shuffled(3, 3, 3, 3).product(self.block_a()).difference(
            mat2_mul_spec(self.block_b(), self.adj_d_c()),
        )
    }

    /// The lower right block of the adjugate, before its signs are set.
    pub open spec fn cofactors_w(self) -> Vector<T> {
        self.block_dets().shuffled(0, 0, 0, 0).product(self.block_d()).difference(
            mat2_mul_spec(self.block_c(), self.adj_a_b()),
        )
    }

    /// The lower left block of the adjugate, before its signs are set.
    pub open spec fn cofactors_y(self) -> Vector<T> {
        self.block_dets().shuffled(2, 2, 2, 2).product(self.block_c()).difference(
            mat2_mul_adj_spec(self.block_d(), self.adj_a_b()),
        )
    }

    /// The upper right block of the adjugate, before its signs are set.
    pub open spec fn cofactors_z(self) -> Vector<T> {
        self.block_dets().shuffled(1, 1, 1, 1).product(self.block_b()).difference(
            mat2_mul_adj_spec(self.block_a(), self.adj_d_c()),
        )
    }

    /// Each step of the four blocks of cofactors is defined.
    pub open spec fn cofactors_req(self) -> bool {
        let s = self.block_dets();
        &&& s.shuffled(3, 3, 3, 3).product_req(self.block_a())
        &&& mat2_mul_req(self.block_b(), self.adj_d_c())
        &&& s.shuffled(3, 3, 3, 3).product(self.block_a()).difference_req(
            mat2_mul_spec(self.block_b(), self.adj_d_c()),
        )
        &&& s.shuffled(0, 0, 0, 0).product_req(self.block_d())
        &&& mat2_mul_req(self.block_c(), self.adj_a_b())
        &&& s.shuffled(0, 0, 0, 0).product(self.block_d()).difference_req(
            mat2_mul_spec(self.block_c(), self.adj_a_b()),
        )
        &&& s.shuffled(2, 2, 2, 2).product_req(self.block_c())
        &&& mat2_mul_adj_req(self.block_d(), self.adj_a_b())
        &&& s.shuffled(2, 2, 2, 2).product(self.block_c()).difference_req(
            mat2_mul_adj_spec(self.block_d(), self.adj_a_b()),
        )
        &&& s.shuffled(1, 1, 1, 1).product_req(self.block_b())
        &&& mat2_mul_adj_req(self.block_a(), self.adj_d_c())
        &&& s.shuffled(1, 1, 1, 1).product(self.block_b()).difference_req(
            mat2_mul_adj_spec(self.block_a(), self.adj_d_c()),
        )
    }

    /// The signs 1, -1, -1, 1 with which the four lanes of a 2x2 matrix enter
    /// its adjugate.
    pub open spec fn adjugate_signs() -> Vector<T> {
        Vector { x: lit::<T>(1), y: lit::<T>(-1), z: lit::<T>(-1), w: lit::<T>(1) }
    }

    /// The signs of a 2x2 adjugate, each divided by the determinant.
    pub open spec fn signs_over_det(self) -> Vector<T> {
        Self::adjugate_signs().quotient(self.det_lanes())
    }

    /// The inverse, by the decomposition into 2x2 blocks: each block of
    /// cofactors times `signs_over_det`, its lanes put where the adjugate of
    /// the block has them.
    pub open spec fn inverse_spec(self) -> Matrix<T> {
        let x = self.cofactors_x().product(self.signs_over_det());
        let y = self.cofactors_y().product(self.signs_over_det());
        let z = self.cofactors_z().product(self.signs_over_det());
        let w = self.cofactors_w().product(self.signs_over_det());
        Matrix {
            r0: Vector::merged(x, z, 3, 1, 3, 1),
            r1: Vector::merged(x, z, 2, 0, 2, 0),
            r2: Vector::merged(y, w, 3, 1, 3, 1),
            r3: Vector::merged(y, w, 2, 0, 2, 0),
        }
    }

    /// Each step of `inverse_spec` is defined. Where division is exact, this
    /// asks for a determinant other than zero.
    pub open spec fn inverse_req(self) -> bool {
        &&& self.det_req()
        &&& self.cofactors_req()
        &&& Self::adjugate_signs().quotient_req(self.det_lanes())
        &&& self.cofactors_x().product_req(self.signs_over_det())
        &&& self.cofactors_y().product_req(self.signs_over_det())
        &&& self.cofactors_z().product_req(self.signs_over_det())
        &&& self.cofactors_w().product_req(self.signs_over_det())
    }

    /// The inverse, in closed form, from the same 2x2 blocks as the
    /// determinant. Nothing is tested: where division by zero is defined, a
    /// singular matrix gives what that division gives.
    pub fn inverse(&self) -> (r: Matrix<T>)
        requires
            sound::<T>(),
            self.inverse_req(),
        ensures
            exact::<T>() ==> r == self.inverse_spec(),
    {
        let m = self.minors();
        let det_a = m.dets.shuffle::<0, 0, 0, 0>();
        let det_c = m.dets.shuffle::<1, 1, 1, 1>();
        let det_b = m.dets.shuffle::<2, 2, 2, 2>();
        let det_d = m.dets.shuffle::<3, 3, 3, 3>();

        let x_ = det_d * m.a - mat2_mul(m.b, m.d_c);
        let w_ = det_a * m.d - mat2_mul(m.c, m.a_b);
        let y_ = det_b * m.c - mat2_mul_adj(m.d, m.a_b);
        let z_ = det_c * m.b - mat2_mul_adj(m.a, m.d_c);

        let one = lane::<T>(1);
        let minus_one = lane::<T>(-1);
        let r_det = Vector::new(one, minus_one, minus_one, one) / m.det;

        let x = x_ * r_det;
        let y = y_ * r_det;
        let z = z_ * r_det;
        let w = w_ * r_det;

        Matrix {
            r0: Vector::shuffle_merge::<3, 1, 3, 1>(x, z),
            r1: Vector::shuffle_merge::<2, 0, 2, 0>(x, z),
            r2: Vector::shuffle_merge::<3, 1, 3, 1>(y, w),
            r3: Vector::shuffle_merge::<2, 0, 2, 0>(y, w),
        }
    }
}

} // verus!
