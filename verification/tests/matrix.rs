use spaceform::base::{Matrix, Vector};

fn dense() -> [[i64; 4]; 4] {
    [[1, 1, 2, 1], [2, 3, 5, 5], [3, 4, 8, 8], [1, 3, 5, 10]]
}

fn as_floats(rows: [[i64; 4]; 4]) -> [[f32; 4]; 4] {
    let mut out = [[0f32; 4]; 4];
    for i in 0..4 {
        for j in 0..4 {
            out[i][j] = rows[i][j] as f32;
        }
    }
    out
}

#[test]
fn matrix_multiply() {
    let mat = Matrix::rows([
        [1f32, 2f32, 3f32, 4f32],
        [5f32, 6f32, 7f32, 8f32],
        [9f32, 10f32, 11f32, 12f32],
        [13f32, 14f32, 15f32, 16f32],
    ]);

    assert_eq!(
        mat * mat,
        Matrix::rows([
            [90f32, 100f32, 110f32, 120f32],
            [202f32, 228f32, 254f32, 280f32],
            [314f32, 356f32, 398f32, 440f32],
            [426f32, 484f32, 542f32, 600f32],
        ])
    );
}

#[test]
fn matrix_transpose() {
    assert_eq!(
        Matrix::rows([
            [1f32, 2f32, 3f32, 4f32],
            [5f32, 6f32, 7f32, 8f32],
            [9f32, 10f32, 11f32, 12f32],
            [13f32, 14f32, 15f32, 16f32],
        ])
        .transpose(),
        Matrix::rows([
            [1f32, 5f32, 9f32, 13f32],
            [2f32, 6f32, 10f32, 14f32],
            [3f32, 7f32, 11f32, 15f32],
            [4f32, 8f32, 12f32, 16f32],
        ])
    )
}

#[test]
fn inverse() {
    let mat = Matrix::rows([
        [2f32, 0f32, 0f32, 0f32],
        [0f32, 2f32, 0f32, 0f32],
        [0f32, 0f32, 2f32, 0f32],
        [0f32, 0f32, 0f32, 1f32],
    ]);

    assert_eq!(mat * mat.inverse(), Matrix::default())
}

#[test]
fn product_is_not_commutative() {
    let a = Matrix::rows([[1i64, 2, 0, 0], [0, 1, 0, 0], [0, 0, 1, 0], [0, 0, 0, 1]]);
    let b = Matrix::rows([[1i64, 0, 0, 0], [3, 1, 0, 0], [0, 0, 1, 0], [0, 0, 0, 1]]);

    assert_eq!(a * b, Matrix::rows([[7, 2, 0, 0], [3, 1, 0, 0], [0, 0, 1, 0], [0, 0, 0, 1]]));
    assert_eq!(b * a, Matrix::rows([[1, 2, 0, 0], [3, 7, 0, 0], [0, 0, 1, 0], [0, 0, 0, 1]]));
}

#[test]
fn identity_is_neutral() {
    let mat = Matrix::rows(dense());

    assert_eq!(mat * Matrix::identity(), mat);
    assert_eq!(Matrix::identity() * mat, mat);
    assert_eq!(Matrix::<i64>::default(), Matrix::identity());
    assert_eq!(
        Matrix::<f32>::identity(),
        Matrix::rows([
            [1f32, 0f32, 0f32, 0f32],
            [0f32, 1f32, 0f32, 0f32],
            [0f32, 0f32, 1f32, 0f32],
            [0f32, 0f32, 0f32, 1f32],
        ])
    );
}

#[test]
fn transposing_twice_changes_nothing() {
    let mat = Matrix::rows(dense());
    assert_eq!(mat.transpose().transpose(), mat);

    let mat = Matrix::rows(as_floats(dense()));
    assert_eq!(mat.transpose().transpose(), mat);
}

#[test]
fn rows_and_columns() {
    let mat = Matrix::rows(dense());

    assert_eq!(mat.get_row(0), Vector::new(1, 1, 2, 1));
    assert_eq!(mat.get_row(1), Vector::new(2, 3, 5, 5));
    assert_eq!(mat.get_row(2), Vector::new(3, 4, 8, 8));
    assert_eq!(mat.get_row(3), Vector::new(1, 3, 5, 10));
    assert_eq!(mat.get_column(0), Vector::new(1, 2, 3, 1));
    assert_eq!(mat.get_column(1), Vector::new(1, 3, 4, 3));
    assert_eq!(mat.get_column(2), Vector::new(2, 5, 8, 5));
    assert_eq!(mat.get_column(3), Vector::new(1, 5, 8, 10));
    assert_eq!(
        Matrix::row_vectors([
            Vector::new(1, 1, 2, 1),
            Vector::new(2, 3, 5, 5),
            Vector::new(3, 4, 8, 8),
            Vector::new(1, 3, 5, 10)
        ]),
        mat
    );
}

#[test]
fn row_vector_times_matrix() {
    let mat = Matrix::rows(dense());
    let vec = Vector::new(1i64, 10, 100, 1000);

    assert_eq!(vec * mat, Vector::new(1321, 3431, 5852, 10851));

    let mut vec = Vector::new(0i64, 0, 1, 0);
    vec *= mat;
    assert_eq!(vec, Vector::new(3, 4, 8, 8));
}

#[test]
fn determinants() {
    assert_eq!(Matrix::rows(dense()).det(), 1);
    assert_eq!(Matrix::<i64>::identity().det(), 1);
    assert_eq!(
        Matrix::rows([[2i64, 0, 1, 3], [1, 1, 0, 2], [0, 3, 1, 1], [4, 1, 2, 0]]).det(),
        -32
    );
    assert_eq!(
        Matrix::rows([[1i64, 2, 0, 0], [3, 4, 0, 0], [0, 0, 1, 2], [0, 0, 3, 4]]).det(),
        4
    );
    assert_eq!(
        Matrix::rows([[0i64, 1, 0, 0], [1, 0, 0, 0], [0, 0, 1, 0], [0, 0, 0, 1]]).det(),
        -1
    );
    assert_eq!(
        Matrix::rows([[1i64, 2, 3, 4], [5, 6, 7, 8], [9, 10, 11, 12], [13, 14, 15, 16]]).det(),
        0
    );
    assert_eq!(
        Matrix::rows([
            [2f32, 0f32, 0f32, 0f32],
            [0f32, 2f32, 0f32, 0f32],
            [0f32, 0f32, 2f32, 0f32],
            [0f32, 0f32, 0f32, 1f32],
        ])
        .det(),
        8f32
    );
}

#[test]
fn inverse_of_a_dense_matrix() {
    let expected = [[20, -4, -5, 4], [-5, 3, 0, -1], [-9, 1, 3, -2], [4, -1, -1, 1]];

    let mat = Matrix::rows(dense());
    assert_eq!(mat.inverse(), Matrix::rows(expected));
    assert_eq!(mat * mat.inverse(), Matrix::identity());
    assert_eq!(mat.inverse() * mat, Matrix::identity());

    let mat = Matrix::rows(as_floats(dense()));
    assert_eq!(mat.inverse(), Matrix::rows(as_floats(expected)));
    assert_eq!(mat * mat.inverse(), Matrix::identity());
}

#[test]
fn inverse_with_a_negative_determinant() {
    let mat = Matrix::rows([[1i64, 1, 2, 1], [2, 3, 5, 5], [1, 3, 5, 10], [3, 4, 8, 8]]);

    assert_eq!(mat.det(), -1);
    assert_eq!(
        mat.inverse(),
        Matrix::rows([[20, -4, 4, -5], [-5, 3, -1, 0], [-9, 1, -2, 3], [4, -1, 1, -1]])
    );
    assert_eq!(mat * mat.inverse(), Matrix::identity());
}

#[test]
fn inverse_in_fractions() {
    let mat = Matrix::rows([
        [2f32, 0f32, 1f32, 3f32],
        [1f32, 1f32, 0f32, 2f32],
        [0f32, 3f32, 1f32, 1f32],
        [4f32, 1f32, 2f32, 0f32],
    ]);

    assert_eq!(
        mat.inverse(),
        Matrix::rows([
            [-0.25, 0.5, -0.25, 0.25],
            [-0.3125, 0.375, 0.1875, 0.0625],
            [0.65625, -1.1875, 0.40625, -0.03125],
            [0.28125, 0.0625, 0.03125, -0.15625],
        ])
    );
    assert_eq!(mat * mat.inverse(), Matrix::identity());
}

#[test]
fn inverse_of_a_singular_matrix_is_not_trapped() {
    let mat = Matrix::rows([
        [1f32, 2f32, 3f32, 4f32],
        [5f32, 6f32, 7f32, 8f32],
        [9f32, 10f32, 11f32, 12f32],
        [13f32, 14f32, 15f32, 16f32],
    ]);

    assert_eq!(mat.det(), 0f32);
    let inverse = mat.inverse();
    for i in 0..4 {
        for j in 0..4 {
            assert!(!inverse.get_row(i).get(j).is_finite());
        }
    }
}

#[test]
fn product_in_place() {
    let mut mat = Matrix::rows(dense());
    mat *= Matrix::rows(dense());

    assert_eq!(mat, Matrix::rows(dense()) * Matrix::rows(dense()));
    assert_eq!(
        mat,
        Matrix::rows([[10, 15, 28, 32], [28, 46, 84, 107], [43, 71, 130, 167], [32, 60, 107, 156]])
    );
}

#[test]
fn equality_of_matrices_is_entry_by_entry() {
    let mat = Matrix::rows(dense());
    let mut other = dense();
    assert!(mat == Matrix::rows(other));
    for i in 0..4 {
        for j in 0..4 {
            other[i][j] += 1;
            assert!(mat != Matrix::rows(other));
            other[i][j] -= 1;
        }
    }
}
